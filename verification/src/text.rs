//! Small operations on text that the configuration needs.

use vstd::prelude::*;
use vstd::string::*;

verus! {

/// The text without the slashes at its end.
pub open spec fn without_trailing_slashes(s: Seq<char>) -> Seq<char>
    decreases s.len(),
{
    if s.len() > 0 && s.last() == '/' {
        without_trailing_slashes(s.drop_last())
    } else {
        s
    }
}

/// The text without the slashes at its start.
pub open spec fn without_leading_slashes(s: Seq<char>) -> Seq<char>
    decreases s.len(),
{
    if s.len() > 0 && s[0] == '/' {
        without_leading_slashes(s.skip(1))
    } else {
        s
    }
}

/// The pattern stands in the text at position `at`.
pub open spec fn occurs_at(pattern: Seq<char>, s: Seq<char>, at: int) -> bool {
    0 <= at && at + pattern.len() <= s.len() && s.subrange(at, at + pattern.len()) == pattern
}

/// The pattern stands somewhere in the text.
pub open spec fn occurs_in(pattern: Seq<char>, s: Seq<char>) -> bool {
    exists|at: int| occurs_at(pattern, s, at)
}

/// Tells whether two texts hold the same characters.
pub fn same_text(a: &str, b: &str) -> (same: bool)
    ensures
        same == (a@ == b@),
{
    a.to_owned() == b.to_owned()
}

/// Removes every `/` from the end of a text.
pub fn trim_end_slashes(s: &str) -> (out: &str)
    ensures
        out@ == without_trailing_slashes(s@),
{
    let mut end: usize = s.unicode_len();
    assert(s@.take(end as int) =~= s@);
    while end > 0 && s.get_char(end - 1) == '/'
        invariant
            end <= s@.len(),
            without_trailing_slashes(s@) == without_trailing_slashes(s@.take(end as int)),
        decreases end,
    {
        assert(s@.take(end as int).drop_last() =~= s@.take(end - 1));
        end -= 1;
    }
    assert(s@.take(end as int) =~= s@.subrange(0, end as int));
    s.substring_char(0, end)
}

/// Removes every `/` from the start of a text.
pub fn trim_start_slashes(s: &str) -> (out: &str)
    ensures
        out@ == without_leading_slashes(s@),
{
    let len = s.unicode_len();
    let mut start: usize = 0;
    assert(s@.skip(0) =~= s@);
    while start < len && s.get_char(start) == '/'
        invariant
            start <= len,
            len == s@.len(),
            without_leading_slashes(s@) == without_leading_slashes(s@.skip(start as int)),
        decreases len - start,
    {
        assert(s@.skip(start as int).skip(1) =~= s@.skip(start + 1));
        start += 1;
    }
    assert(s@.skip(start as int) =~= s@.subrange(start as int, len as int));
    s.substring_char(start, len)
}

/// Tells whether the pattern stands in the text at position `at`.
fn matches_at(s: &str, pattern: &str, at: usize) -> (found: bool)
    requires
        at + pattern@.len() <= s@.len() <= usize::MAX,
    ensures
        found == occurs_at(pattern@, s@, at as int),
{
    let m = pattern.unicode_len();
    let mut j: usize = 0;
    while j < m
        invariant
            j <= m,
            m == pattern@.len(),
            at + m <= s@.len() <= usize::MAX,
            s@.subrange(at as int, at + j) == pattern@.take(j as int),
        decreases m - j,
    {
        if s.get_char(at + j) != pattern.get_char(j) {
            assert(s@.subrange(at as int, at + m)[j as int] != pattern@[j as int]);
            return false;
        }
        assert(s@.subrange(at as int, at + j + 1) =~= s@.subrange(at as int, at + j).push(
            s@[at + j],
        ));
        assert(pattern@.take(j + 1) =~= pattern@.take(j as int).push(pattern@[j as int]));
        j += 1;
    }
    assert(pattern@.take(m as int) =~= pattern@);
    true
}

/// Tells whether the pattern stands somewhere in the text. The empty pattern
/// stands in every text.
pub fn contains(s: &str, pattern: &str) -> (found: bool)
    ensures
        found == occurs_in(pattern@, s@),
{
    let n = s.unicode_len();
    let m = pattern.unicode_len();
    if m > n {
        assert(!occurs_in(pattern@, s@)) by {
            assert forall|at: int| !occurs_at(pattern@, s@, at) by {}
        }
        return false;
    }
    let last: usize = n - m;
    let mut at: usize = 0;
    loop
        invariant
            at <= last,
            last == n - m,
            n == s@.len(),
            m == pattern@.len(),
            forall|k: int| 0 <= k < at ==> !occurs_at(pattern@, s@, k),
        ensures
            forall|k: int| 0 <= k <= last ==> !occurs_at(pattern@, s@, k),
        decreases last - at,
    {
        if matches_at(s, pattern, at) {
            return true;
        }
        if at == last {
            break ;
        }
        at += 1;
    }
    assert(!occurs_in(pattern@, s@)) by {
        assert forall|k: int| !occurs_at(pattern@, s@, k) by {}
    }
    false
}

} // verus!
