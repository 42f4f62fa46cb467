//! Searching text for a phrase.

use vstd::prelude::*;
use vstd::std_specs::iter::IteratorSpec;

verus! {

/// Whether `needle` stands at position `at` of `haystack`.
pub open spec fn occurs_at(haystack: Seq<char>, needle: Seq<char>, at: int) -> bool {
    &&& 0 <= at
    &&& at + needle.len() <= haystack.len()
    &&& haystack.subrange(at, at + needle.len()) == needle
}

/// Whether `needle` stands somewhere in `haystack`, as one unbroken run.
pub open spec fn contains(haystack: Seq<char>, needle: Seq<char>) -> bool {
    exists|at: int| occurs_at(haystack, needle, at)
}

/// The characters of `text`, one by one.
pub fn chars_of(text: &str) -> (chars: Vec<char>)
    ensures
        chars@ == text@,
{
    let mut chars: Vec<char> = Vec::new();
    let mut rest = text.chars();
    loop
        invariant
            chars@ + rest.remaining() == text@,
            rest.decrease() is Some,
        ensures
            chars@ == text@,
        decreases rest.decrease()->0,
    {
        match rest.next() {
            Some(c) => {
                chars.push(c);
            },
            None => {
                assert(chars@ =~= text@);
                break ;
            },
        }
    }
    chars
}

/// Whether `needle` stands at position `at` of `haystack`.
fn matches_at(haystack: &Vec<char>, needle: &Vec<char>, at: usize) -> (matched: bool)
    requires
        at + needle.len() <= haystack.len(),
    ensures
        matched == occurs_at(haystack@, needle@, at as int),
{
    let mut k: usize = 0;
    while k < needle.len()
        invariant
            k <= needle.len(),
            at + needle.len() <= haystack.len(),
            forall|j: int| 0 <= j < k ==> haystack@[at + j] == needle@[j],
        decreases needle.len() - k,
    {
        if haystack[at + k] != needle[k] {
            assert(haystack@.subrange(at as int, at + needle.len())[k as int] != needle@[k as int]);
            return false;
        }
        k += 1;
    }
    assert(haystack@.subrange(at as int, at + needle.len()) =~= needle@);
    true
}

/// Whether `needle` stands somewhere in `haystack`, as one unbroken run of
/// characters. The empty phrase stands in every text.
pub fn contains_phrase(haystack: &str, needle: &str) -> (found: bool)
    ensures
        found == contains(haystack@, needle@),
{
    let hay = chars_of(haystack);
    let phrase = chars_of(needle);
    if phrase.len() == 0 {
        assert(hay@.subrange(0, 0) =~= phrase@);
        assert(occurs_at(hay@, phrase@, 0));
        return true;
    }
    if phrase.len() > hay.len() {
        return false;
    }
    let last: usize = hay.len() - phrase.len();
    let mut at: usize = 0;
    while at <= last
        invariant
            at <= last + 1,
            last == hay.len() - phrase.len(),
            0 < phrase.len() <= hay.len(),
            hay@ == haystack@,
            phrase@ == needle@,
            forall|k: int| 0 <= k < at ==> !occurs_at(hay@, phrase@, k),
        decreases last + 1 - at,
    {
        if matches_at(&hay, &phrase, at) {
            return true;
        }
        at += 1;
    }
    false
}

} // verus!
