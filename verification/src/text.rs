//! Small helpers on strings, which the verified code sees as sequences of
//! characters.

use vstd::prelude::*;

verus! {

/// The characters of `s`, in order.
pub fn chars_of(s: &str) -> (out: Vec<char>)
    ensures
        out@ == s@,
{
    let mut out: Vec<char> = Vec::new();
    for c in it: s.chars()
        invariant
            out@ == it.seq().take(it.index()),
            it.seq() == s@,
    {
        out.push(c);
    }
    out
}

/// Whether `pattern` stands in `text` at index `i`.
pub open spec fn occurs_at(text: Seq<char>, pattern: Seq<char>, i: int) -> bool {
    &&& 0 <= i
    &&& i + pattern.len() <= text.len()
    &&& text.subrange(i, i + pattern.len()) == pattern
}

/// Whether `i` is the first index at which `pattern` stands in `text`.
pub open spec fn first_occurrence(text: Seq<char>, pattern: Seq<char>, i: int) -> bool {
    &&& occurs_at(text, pattern, i)
    &&& forall|j: int| 0 <= j < i ==> !occurs_at(text, pattern, j)
}

/// Whether `pattern` stands somewhere in `text`.
pub open spec fn occurs(text: Seq<char>, pattern: Seq<char>) -> bool {
    exists|i: int| occurs_at(text, pattern, i)
}

/// Tells whether `pattern` stands in `text` at index `i`.
pub fn matches_at(text: &Vec<char>, pattern: &Vec<char>, i: usize) -> (found: bool)
    ensures
        found == occurs_at(text@, pattern@, i as int),
{
    if pattern.len() > text.len() || i > text.len() - pattern.len() {
        return false;
    }
    let mut k: usize = 0;
    while k < pattern.len()
        invariant
            k <= pattern.len(),
            i + pattern.len() <= text.len(),
            forall|m: int| 0 <= m < k ==> text@[i + m] == pattern@[m],
        decreases pattern.len() - k,
    {
        if text[i + k] != pattern[k] {
            assert(text@.subrange(i as int, i + pattern@.len())[k as int] != pattern@[k as int]);
            return false;
        }
        k += 1;
    }
    assert(text@.subrange(i as int, i + pattern@.len()) =~= pattern@);
    true
}

/// Finds the first index at which `pattern` stands in `text`.
pub fn find(text: &Vec<char>, pattern: &Vec<char>) -> (out: Option<usize>)
    ensures
        out is Some == occurs(text@, pattern@),
        out matches Some(i) ==> first_occurrence(text@, pattern@, i as int),
{
    let mut i: usize = 0;
    while i < text.len()
        invariant
            i <= text.len(),
            forall|j: int| 0 <= j < i ==> !occurs_at(text@, pattern@, j),
        decreases text.len() - i,
    {
        if matches_at(text, pattern, i) {
            return Some(i);
        }
        i += 1;
    }
    // Only the empty pattern stands at the very end.
    if matches_at(text, pattern, i) {
        Some(i)
    } else {
        None
    }
}

} // verus!
