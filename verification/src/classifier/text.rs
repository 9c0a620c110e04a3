//! Substring predicates over titles, stated on character sequences.

use vstd::prelude::*;

verus! {

/// `needle` occurs in `hay` starting at position `at`.
pub open spec fn occurs_at(needle: Seq<char>, hay: Seq<char>, at: int) -> bool {
    &&& 0 <= at
    &&& at + needle.len() <= hay.len()
    &&& hay.subrange(at, at + needle.len()) == needle
}

/// `needle` occurs somewhere in `hay` as a contiguous run of characters.
pub open spec fn is_substring(needle: Seq<char>, hay: Seq<char>) -> bool {
    exists|at: int| occurs_at(needle, hay, at)
}

/// The characters of a string, in order.
pub fn chars_of(s: &str) -> (chars: Vec<char>)
    ensures
        chars@ == s@,
{
    let mut chars: Vec<char> = Vec::new();
    for c in it: s.chars()
        invariant
            chars@ == s@.take(it.index() as int),
            it.seq() == s@,
    {
        chars.push(c);
    }
    chars
}

/// Whether `needle` occurs in `hay` at position `at`.
pub fn matches_at(hay: &Vec<char>, needle: &Vec<char>, at: usize) -> (r: bool)
    ensures
        r == occurs_at(needle@, hay@, at as int),
{
    let n = needle.len();
    let m = hay.len();
    if n > m || at > m - n {
        return false;
    }
    let mut i: usize = 0;
    while i < n
        invariant
            i <= n,
            n == needle@.len(),
            m == hay@.len(),
            at + n <= m,
            forall|j: int| 0 <= j < i ==> hay@[at + j] == needle@[j],
        decreases n - i,
    {
        if hay[at + i] != needle[i] {
            assert(hay@.subrange(at as int, at + n)[i as int] != needle@[i as int]);
            return false;
        }
        i += 1;
    }
    assert(hay@.subrange(at as int, at + n) =~= needle@);
    true
}

/// Whether `hay` begins with `needle`.
pub fn starts_with(hay: &Vec<char>, needle: &Vec<char>) -> (r: bool)
    ensures
        r == needle@.is_prefix_of(hay@),
{
    matches_at(hay, needle, 0)
}

/// Whether `hay` ends with `needle`.
pub fn ends_with(hay: &Vec<char>, needle: &Vec<char>) -> (r: bool)
    ensures
        r == needle@.is_suffix_of(hay@),
{
    if needle.len() > hay.len() {
        return false;
    }
    matches_at(hay, needle, hay.len() - needle.len())
}

/// Whether `needle` occurs anywhere in `hay`.
pub fn contains(hay: &Vec<char>, needle: &Vec<char>) -> (r: bool)
    ensures
        r == is_substring(needle@, hay@),
{
    if needle.len() > hay.len() {
        return false;
    }
    let last = hay.len() - needle.len();
    let mut at: usize = 0;
    loop
        invariant
            at <= last,
            last + needle@.len() == hay@.len(),
            forall|k: int| 0 <= k < at ==> !occurs_at(needle@, hay@, k),
        decreases last - at,
    {
        if matches_at(hay, needle, at) {
            return true;
        }
        if at == last {
            return false;
        }
        at += 1;
    }
}

} // verus!
