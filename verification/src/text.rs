//! Small operations on text, stated over sequences of characters.

use vstd::prelude::*;
use vstd::string::StrSliceExecFns;

verus! {

/// Whether `needle` stands in `hay` at offset `at`.
pub open spec fn occurs_at(hay: Seq<char>, needle: Seq<char>, at: int) -> bool {
    &&& 0 <= at
    &&& at + needle.len() <= hay.len()
    &&& hay.subrange(at, at + needle.len()) == needle
}

/// Whether `needle` stands somewhere in `hay`.
pub open spec fn contains_text(hay: Seq<char>, needle: Seq<char>) -> bool {
    exists|at: int| occurs_at(hay, needle, at)
}

/// Whether `text` begins with `prefix`.
pub open spec fn starts_with_text(text: Seq<char>, prefix: Seq<char>) -> bool {
    occurs_at(text, prefix, 0)
}

/// The characters of a string, one by one.
pub fn chars_of(text: &str) -> (chars: Vec<char>)
    ensures
        chars@ == text@,
{
    let len = text.unicode_len();
    let mut chars: Vec<char> = Vec::new();
    let mut at: usize = 0;
    while at < len
        invariant
            at <= len,
            len == text@.len(),
            chars@ == text@.take(at as int),
        decreases len - at,
    {
        chars.push(text.get_char(at));
        assert(text@.take(at as int).push(text@[at as int]) =~= text@.take(at as int + 1));
        at = at + 1;
    }
    assert(text@.take(len as int) =~= text@);
    chars
}

/// Tests whether `needle` stands in `hay` at offset `at`.
pub fn matches_at(hay: &Vec<char>, needle: &Vec<char>, at: usize) -> (found: bool)
    ensures
        found == occurs_at(hay@, needle@, at as int),
{
    if needle.len() > hay.len() || at > hay.len() - needle.len() {
        return false;
    }
    let mut k: usize = 0;
    while k < needle.len()
        invariant
            k <= needle@.len(),
            at + needle@.len() <= hay@.len() <= usize::MAX,
            forall|j: int| 0 <= j < k ==> hay@[at + j] == needle@[j],
        decreases needle@.len() - k,
    {
        if hay[at + k] != needle[k] {
            assert(hay@.subrange(at as int, at + needle@.len())[k as int] == hay@[at + k]);
            return false;
        }
        k = k + 1;
    }
    assert(hay@.subrange(at as int, at + needle@.len()) =~= needle@);
    true
}

/// Tests whether `text` begins with `prefix`.
pub fn starts_with(text: &str, prefix: &str) -> (found: bool)
    ensures
        found == starts_with_text(text@, prefix@),
{
    let hay = chars_of(text);
    let needle = chars_of(prefix);
    matches_at(&hay, &needle, 0)
}

/// Tests whether `needle` stands somewhere in `text`.
pub fn contains(text: &str, needle: &str) -> (found: bool)
    ensures
        found == contains_text(text@, needle@),
{
    let hay = chars_of(text);
    let pattern = chars_of(needle);
    if pattern.len() > hay.len() {
        assert forall|at: int| !occurs_at(hay@, pattern@, at) by {}
        return false;
    }
    let last = hay.len() - pattern.len();
    let mut at: usize = 0;
    while at < last
        invariant
            at <= last,
            last == hay@.len() - pattern@.len(),
            hay@ == text@,
            pattern@ == needle@,
            forall|j: int| 0 <= j < at ==> !occurs_at(hay@, pattern@, j),
        decreases last - at,
    {
        if matches_at(&hay, &pattern, at) {
            assert(occurs_at(hay@, pattern@, at as int));
            return true;
        }
        at = at + 1;
    }
    let found = matches_at(&hay, &pattern, last);
    proof {
        if found {
            assert(occurs_at(hay@, pattern@, last as int));
        } else {
            assert forall|j: int| !occurs_at(hay@, pattern@, j) by {}
        }
    }
    found
}

} // verus!
